use vstd::prelude::*;
use crate::error::{Error, outcome};
use crate::pattern::{Matcher, regex_compile, regex_captures, caps_view, group, compile, captures, group_of};
use crate::text::{lines, lines_of, trim, trimmed, views};

verus! {

/// The first of `lines`, from index `from` on, that the regex of `pattern`
/// matches: its index and its capture groups.
pub open spec fn first_match(pattern: Seq<char>, lines: Seq<Seq<char>>, from: int) -> Option<
    (int, Seq<Option<Seq<char>>>),
>
    decreases lines.len() - from,
{
    if 0 <= from < lines.len() {
        match regex_captures(pattern, lines[from]) {
            Some(c) => Some((from, c)),
            None => first_match(pattern, lines, from + 1),
        }
    } else {
        None
    }
}

/// Searches `lines` from index `from` on for the first that `m` matches.
pub(crate) fn search(m: &Matcher, lines: &Vec<String>, from: usize) -> (res: Option<
    (usize, Vec<Option<String>>),
>)
    ensures
        match res {
            Some((i, caps)) => first_match(m.pattern(), views(lines@), from as int) == Some(
                (i as int, caps_view(caps@)),
            ),
            None => first_match(m.pattern(), views(lines@), from as int) is None,
        },
        res matches Some((i, _)) ==> from <= i < lines@.len(),
{
    let n = lines.len();
    let mut i = from;
    while i < n
        invariant
            n == lines@.len(),
            from <= i,
            first_match(m.pattern(), views(lines@), from as int) == first_match(
                m.pattern(),
                views(lines@),
                i as int,
            ),
        decreases n - i,
    {
        match captures(m, lines[i].as_str()) {
            Some(caps) => {
                return Some((i, caps));
            },
            None => {},
        }
        i = i + 1;
    }
    None
}

/// Group 1 of the first line of `text` that the regex of `pattern` matches,
/// trimmed; `missing` where no line matches or the group took no part.
pub open spec fn first_group_spec(pattern: Seq<char>, text: Seq<char>, missing: Seq<char>) -> Result<
    Seq<char>,
    Seq<char>,
> {
    match regex_compile(pattern) {
        Err(m) => Err(m),
        Ok(_) => match first_match(pattern, lines_of(text), 0) {
            Some((_, c)) => match group(c, 1) {
                Some(g) => Ok(trimmed(g)),
                None => Err(missing),
            },
            None => Err(missing),
        },
    }
}

/// Group 1 of the first line of `text` that `pattern` matches, trimmed, or
/// the error `missing`.
pub fn first_group(pattern: &str, text: &str, missing: &str) -> (res: Result<String, Error>)
    ensures
        outcome(res) == first_group_spec(pattern@, text@, missing@),
{
    let m = match compile(pattern) {
        Ok(m) => m,
        Err(msg) => return Err(Error(msg)),
    };
    let ls = lines(text);
    match search(&m, &ls, 0) {
        Some((_, caps)) => match group_of(&caps, 1) {
            Some(g) => Ok(trim(g.as_str())),
            None => Err(Error::new(missing)),
        },
        None => Err(Error::new(missing)),
    }
}

/// Compiles `pattern` only to learn whether it compiles.
pub fn check_pattern(pattern: &str) -> (res: Result<(), Error>)
    ensures
        match res {
            Ok(_) => regex_compile(pattern@) is Ok,
            Err(e) => regex_compile(pattern@) == Err::<(), Seq<char>>(e@),
        },
{
    match compile(pattern) {
        Ok(_) => Ok(()),
        Err(msg) => Err(Error(msg)),
    }
}

} // verus!
