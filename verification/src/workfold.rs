use vstd::prelude::*;
use crate::error::{Error, outcome};
use crate::pattern::{regex_compile, escaped, group, compile, escape, group_of};
use crate::scan::{first_match, search};
use crate::text::{lines, lines_of, trim, trimmed, is_trimmed, lemma_trimmed};

verus! {

/// The mapping of a TFS workspace onto the local repository, as
/// `tf workfold` reports it.
#[derive(Debug, PartialEq, Eq)]
pub struct Workfold {
    pub workspace: String,
    pub collection: String,
    /// The server path, such as `$/Project/Main`.
    pub remote: String,
    /// The local folder that the server path is mapped to.
    pub local: String,
}

/// A workfold by the text of its fields.
pub struct WorkfoldView {
    pub workspace: Seq<char>,
    pub collection: Seq<char>,
    pub remote: Seq<char>,
    pub local: Seq<char>,
}

impl View for Workfold {
    type V = WorkfoldView;

    open spec fn view(&self) -> WorkfoldView {
        WorkfoldView {
            workspace: self.workspace@,
            collection: self.collection@,
            remote: self.remote@,
            local: self.local@,
        }
    }
}

/// The line that names the workspace.
pub open spec fn workspace_pattern() -> Seq<char> {
    "\\s*Workspace:\\s*([\\s\\S]*)\\s*"@
}

/// The line that names the collection.
pub open spec fn collection_pattern() -> Seq<char> {
    "\\s*Collection:\\s*([\\s\\S]*)\\s*"@
}

/// The line that maps a server path onto `toplevel`.
pub open spec fn path_map_pattern(toplevel: Seq<char>) -> Seq<char> {
    "\\s*(\\$[^:]*)\\s*:\\s*("@ + escaped(toplevel) + ")\\s*"@
}

/// What `tf workfold` output says of the workfold whose local folder is
/// `toplevel`. The workspace line is looked for first, the collection line
/// after it, and the mapping line after that; each value is trimmed.
pub open spec fn workfold_spec(output: Seq<char>, toplevel: Seq<char>) -> Result<
    WorkfoldView,
    Seq<char>,
> {
    let ls = lines_of(output);
    match regex_compile(workspace_pattern()) {
        Err(m) => Err(m),
        Ok(_) => match first_match(workspace_pattern(), ls, 0) {
            None => Err("Missing workspace"@),
            Some((i, wc)) => match group(wc, 1) {
                None => Err("Missing workspace"@),
                Some(ws) => match regex_compile(collection_pattern()) {
                    Err(m) => Err(m),
                    Ok(_) => match first_match(collection_pattern(), ls, i + 1) {
                        None => Err("Missing collection"@),
                        Some((j, cc)) => match group(cc, 1) {
                            None => Err("Missing collection"@),
                            Some(coll) => match regex_compile(path_map_pattern(toplevel)) {
                                Err(m) => Err(m),
                                Ok(_) => match first_match(path_map_pattern(toplevel), ls, j + 1) {
                                    None => Err("Missing path_map"@),
                                    Some((_, pc)) => match (group(pc, 1), group(pc, 2)) {
                                        (Some(remote), Some(local)) => Ok(
                                            WorkfoldView {
                                                workspace: trimmed(ws),
                                                collection: trimmed(coll),
                                                remote: trimmed(remote),
                                                local: trimmed(local),
                                            },
                                        ),
                                        _ => Err("Missing path_map"@),
                                    },
                                },
                            },
                        },
                    },
                },
            },
        },
    }
}

/// The regex that finds the mapping onto `toplevel`.
fn path_map_source(toplevel: &str) -> (p: String)
    ensures
        p@ == path_map_pattern(toplevel@),
{
    let mut p = String::from_str("\\s*(\\$[^:]*)\\s*:\\s*(");
    let e = escape(toplevel);
    p.append(e.as_str());
    p.append(")\\s*");
    p
}

/// Reads the output of `tf workfold <toplevel>`.
pub fn parse_workfold(output: &str, toplevel: &str) -> (res: Result<Workfold, Error>)
    ensures
        outcome(res) == workfold_spec(output@, toplevel@),
{
    let ls = lines(output);
    let n = ls.len();
    let wm = match compile("\\s*Workspace:\\s*([\\s\\S]*)\\s*") {
        Ok(m) => m,
        Err(msg) => return Err(Error(msg)),
    };
    let (i, wc) = match search(&wm, &ls, 0) {
        Some(found) => found,
        None => return Err(Error::new("Missing workspace")),
    };
    let ws = match group_of(&wc, 1) {
        Some(g) => g,
        None => return Err(Error::new("Missing workspace")),
    };
    let cm = match compile("\\s*Collection:\\s*([\\s\\S]*)\\s*") {
        Ok(m) => m,
        Err(msg) => return Err(Error(msg)),
    };
    assert(i < n);
    let (j, cc) = match search(&cm, &ls, i + 1) {
        Some(found) => found,
        None => return Err(Error::new("Missing collection")),
    };
    let coll = match group_of(&cc, 1) {
        Some(g) => g,
        None => return Err(Error::new("Missing collection")),
    };
    let ps = path_map_source(toplevel);
    let pm = match compile(ps.as_str()) {
        Ok(m) => m,
        Err(msg) => return Err(Error(msg)),
    };
    assert(j < n);
    let (_, pc) = match search(&pm, &ls, j + 1) {
        Some(found) => found,
        None => return Err(Error::new("Missing path_map")),
    };
    let remote = match group_of(&pc, 1) {
        Some(g) => g,
        None => return Err(Error::new("Missing path_map")),
    };
    let local = match group_of(&pc, 2) {
        Some(g) => g,
        None => return Err(Error::new("Missing path_map")),
    };
    Ok(
        Workfold {
            workspace: trim(ws.as_str()),
            collection: trim(coll.as_str()),
            remote: trim(remote.as_str()),
            local: trim(local.as_str()),
        },
    )
}

/// Every field of a workfold that is read from `tf workfold` output is free
/// of surrounding white space.
pub proof fn lemma_workfold_fields_trimmed(output: Seq<char>, toplevel: Seq<char>)
    requires
        workfold_spec(output, toplevel) is Ok,
    ensures
        ({
            let w = workfold_spec(output, toplevel)->Ok_0;
            &&& is_trimmed(w.workspace)
            &&& is_trimmed(w.collection)
            &&& is_trimmed(w.remote)
            &&& is_trimmed(w.local)
        }),
{
    broadcast use lemma_trimmed;

}

} // verus!
