use git_tfs::changes::{ChangeMatchers, TfOp};
use git_tfs::history::parse_history;
use git_tfs::scan::first_group;
use git_tfs::workfold::{parse_workfold, Workfold};
use git_tfs::Error;

fn workfold(ws: &str, coll: &str, remote: &str, local: &str) -> Workfold {
    Workfold {
        workspace: ws.to_string(),
        collection: coll.to_string(),
        remote: remote.to_string(),
        local: local.to_string(),
    }
}

#[test]
fn workfold_is_read_in_order() {
    let out = "===\nWorkspace: MYPC (user)\nCollection: http://tfs:8080/tfs/Coll\n $/Project/Main: /home/u/repo";
    assert_eq!(
        parse_workfold(out, "/home/u/repo"),
        Ok(workfold("MYPC (user)", "http://tfs:8080/tfs/Coll", "$/Project/Main", "/home/u/repo"))
    );
}

#[test]
fn workfold_without_workspace() {
    assert_eq!(
        parse_workfold("Collection: c\n $/P: /r", "/r"),
        Err(Error::new("Missing workspace"))
    );
}

#[test]
fn workfold_collection_must_follow_workspace() {
    let out = "Collection: c\nWorkspace: w\n $/P: /r";
    assert_eq!(parse_workfold(out, "/r"), Err(Error::new("Missing collection")));
}

#[test]
fn workfold_mapping_must_name_the_toplevel() {
    let out = "Workspace: w\nCollection: c\n $/P: /other";
    assert_eq!(parse_workfold(out, "/r"), Err(Error::new("Missing path_map")));
}

#[test]
fn workfold_toplevel_with_meta_characters() {
    let out = "Workspace: w\nCollection: c\n$/P/Main : C:\\src\\main+x (1)";
    assert_eq!(
        parse_workfold(out, "C:\\src\\main+x (1)"),
        Ok(workfold("w", "c", "$/P/Main", "C:\\src\\main+x (1)"))
    );
}

#[test]
fn latest_version_is_the_first_number() {
    let out = "Changeset User   Date       Comment\n--------- ------ ---------- -------\n105       jane   1/15/2024  fix";
    assert_eq!(first_group("(^[0-9]+)", out, "Missing version"), Ok("105".to_string()));
    assert_eq!(
        first_group("(^[0-9]+)", "none here", "Missing version"),
        Err(Error::new("Missing version"))
    );
}

#[test]
fn last_version_is_read_from_the_trailer() {
    let msg = "Fix the build\n\ngit-tf-id: 456";
    assert_eq!(
        first_group("\\s*git-tf-id:\\s*([0-9]+)\\s*", msg, "Missing last version"),
        Ok("456".to_string())
    );
    assert_eq!(
        first_group("\\s*git-tf-id:\\s*([0-9]+)\\s*", "no trailer", "Missing last version"),
        Err(Error::new("Missing last version"))
    );
}

#[test]
fn hash_pattern_drops_the_first_and_last_character() {
    assert_eq!(
        first_group(".([a-z0-9]*).", "0123456789abcdef", "Missing hash"),
        Ok("123456789abcde".to_string())
    );
}

#[test]
fn invalid_pattern_gives_the_regex_error() {
    let r = first_group("(unclosed", "text", "Missing");
    assert!(r.is_err());
    assert_ne!(r, Err(Error::new("Missing")));
}

const HISTORY: &str = "-----------------------------------------------
Changeset: 102
User: Jane Doe
Date: Jan 15, 2024, 02:30:00 PM

Comment:
  Second change
  skip NO_CI here
  more text

Items:
  edit $/Project/Main/a.txt

-----------------------------------------------
Changeset: 101
User: John
Date: Jan 14, 2024, 09:00:00 AM

Comment:
  First change
Items:
  add $/Project/Main/b.txt
";

#[test]
fn history_lists_each_ended_changeset() {
    let cs = parse_history(HISTORY).unwrap();
    assert_eq!(cs.len(), 2);
    assert_eq!(cs[0].changeset, "102");
    assert_eq!(cs[0].user, "Jane Doe");
    assert_eq!(cs[0].date, "Jan 15, 2024, 02:30:00 PM");
    assert_eq!(cs[0].comment, vec!["Second change".to_string(), "more text".to_string(), String::new()]);
    assert_eq!(cs[1].changeset, "101");
    assert_eq!(cs[1].user, "John");
    assert_eq!(cs[1].comment, vec!["First change".to_string()]);
}

#[test]
fn history_drops_a_changeset_that_is_not_ended() {
    let text = "Changeset: 7\nUser: u\nComment:\n  text";
    assert_eq!(parse_history(text).unwrap().len(), 0);
}

#[test]
fn history_fields_are_trimmed() {
    for c in parse_history(HISTORY).unwrap() {
        assert_eq!(c.user.trim(), c.user);
        assert_eq!(c.date.trim(), c.date);
        assert_eq!(c.changeset.trim(), c.changeset);
        for l in &c.comment {
            assert_eq!(l.trim(), l);
        }
    }
}

fn op(label: &str, verb: &str, path: &str) -> TfOp {
    TfOp { label: label.to_string(), verb: verb.to_string(), path: path.to_string() }
}

#[test]
fn diff_line_modified() {
    let m = ChangeMatchers::new().unwrap();
    assert_eq!(m.changes("M\tsrc/main.rs", "/repo"), Ok(vec![op("M: src/main.rs", "checkout", "/repo/src/main.rs")]));
}

#[test]
fn diff_line_patterns_are_tried_in_order() {
    let m = ChangeMatchers::new().unwrap();
    assert_eq!(m.changes("A\tdocs/Makefile", "/repo"), Ok(vec![op("M: akefile", "checkout", "/repo/akefile")]));
    assert_eq!(m.changes("A\tnew.txt", "/repo"), Ok(vec![op("A: new.txt", "add", "/repo/new.txt")]));
    assert_eq!(m.changes("D\told.txt", "/repo"), Ok(vec![op("D: old.txt", "delete", "/repo/old.txt")]));
}

#[test]
fn diff_line_renamed_and_copied() {
    let m = ChangeMatchers::new().unwrap();
    assert_eq!(
        m.changes("R100 old.txt -> new.txt", "/repo"),
        Ok(vec![op("A: new.txt", "add", "/repo/old.txt"), op("D: old.txt", "delete", "/repo/old.txt")])
    );
    assert_eq!(m.changes("C75 a.txt -> b.txt", "/repo"), Ok(vec![op("A: a.txt", "add", "/repo/a.txt")]));
}

#[test]
fn diff_line_that_asks_nothing() {
    let m = ChangeMatchers::new().unwrap();
    assert_eq!(m.changes("x.txt", "/repo"), Ok(vec![]));
    assert_eq!(m.changes("R100\told.txt\tnew.txt", "/repo"), Ok(vec![]));
}
