use vstd::prelude::*;

verus! {

#[verifier::external_type_specification]
#[verifier::external_body]
pub struct ExRegex(regex::Regex);

/// What `regex::Regex::new` makes of `pattern`: `Ok(())` where it compiles,
/// else `Err` with the message that the error displays.
pub uninterp spec fn regex_compile(pattern: Seq<char>) -> Result<(), Seq<char>>;

/// What `regex::Regex::captures` finds for the regex of `pattern` in
/// `haystack`: `None` where nothing matches, else the text of each capture
/// group of the leftmost-first match, group 0 first, `None` for a group that
/// took no part in the match.
pub uninterp spec fn regex_captures(pattern: Seq<char>, haystack: Seq<char>) -> Option<
    Seq<Option<Seq<char>>>,
>;

/// What `regex::Regex::find` finds for the regex of `pattern` in `haystack`:
/// `None` where nothing matches, else the byte offsets at which the
/// leftmost-first match starts and ends.
pub uninterp spec fn regex_find(pattern: Seq<char>, haystack: Seq<char>) -> Option<(usize, usize)>;

/// A compiled regular expression together with the pattern it was compiled
/// from. Only `compile` builds one, so `re` is always the regex of `source`.
pub struct Matcher {
    re: regex::Regex,
    source: String,
}

impl Matcher {
    /// The pattern the regex was compiled from.
    pub closed spec fn pattern(&self) -> Seq<char> {
        self.source@
    }
}

/// The outcome of a compilation, without the compiled regex.
pub open spec fn compile_outcome(res: Result<Matcher, String>) -> Result<(), Seq<char>> {
    match res {
        Ok(_) => Ok(()),
        Err(msg) => Err(msg@),
    }
}

/// The text of each capture group.
pub open spec fn caps_view(v: Seq<Option<String>>) -> Seq<Option<Seq<char>>> {
    v.map_values(
        |x: Option<String>|
            match x {
                Some(s) => Some(s@),
                None => None,
            },
    )
}

/// The capture groups of a match, if there is one, by their text.
pub open spec fn groups_view(g: Option<Vec<Option<String>>>) -> Option<Seq<Option<Seq<char>>>> {
    match g {
        Some(v) => Some(caps_view(v@)),
        None => None,
    }
}

/// Compiles `pattern` with `regex::Regex::new`. Claims that the outcome is
/// `regex_compile(pattern)`, the error being turned into its message, and that
/// the matcher remembers `pattern`.
#[verifier::external_body]
pub(crate) fn compile(pattern: &str) -> (res: Result<Matcher, String>)
    ensures
        compile_outcome(res) == regex_compile(pattern@),
        res matches Ok(m) ==> m.pattern() == pattern@,
{
    match regex::Regex::new(pattern) {
        Ok(re) => Ok(Matcher { re, source: pattern.to_string() }),
        Err(e) => Err(e.to_string()),
    }
}

/// Runs `regex::Regex::captures` and copies out the text of every group.
/// Claims that the result is `regex_captures` of the matcher's pattern and
/// the haystack.
#[verifier::external_body]
pub(crate) fn captures(m: &Matcher, haystack: &str) -> (res: Option<Vec<Option<String>>>)
    ensures
        groups_view(res) == regex_captures(m.pattern(), haystack@),
{
    m.re.captures(haystack).map(
        |caps| caps.iter().map(|g| g.map(|x| x.as_str().to_string())).collect(),
    )
}

/// Runs `regex::Regex::find` and keeps the offsets of the match. Claims that
/// the result is `regex_find` of the matcher's pattern and the haystack.
#[verifier::external_body]
pub(crate) fn find(m: &Matcher, haystack: &str) -> (res: Option<(usize, usize)>)
    ensures
        res == regex_find(m.pattern(), haystack@),
{
    m.re.find(haystack).map(|x| (x.start(), x.end()))
}

/// The characters that `regex::escape` puts a backslash before.
pub open spec fn is_meta_character(c: char) -> bool {
    ||| c == '\\' || c == '.' || c == '+' || c == '*' || c == '?' || c == '('
    ||| c == ')' || c == '|' || c == '[' || c == ']' || c == '{' || c == '}'
    ||| c == '^' || c == '$' || c == '#' || c == '&' || c == '-' || c == '~'
}

/// `s` with a backslash before each meta character.
pub open spec fn escaped(s: Seq<char>) -> Seq<char>
    decreases s.len(),
{
    if s.len() == 0 {
        seq![]
    } else if is_meta_character(s.last()) {
        escaped(s.drop_last()).push('\\').push(s.last())
    } else {
        escaped(s.drop_last()).push(s.last())
    }
}

/// Calls `regex::escape`, which puts a backslash before each meta character
/// of `text` and keeps every other character; the contract says exactly that.
#[verifier::external_body]
pub(crate) fn escape(text: &str) -> (res: String)
    ensures
        res@ == escaped(text@),
{
    regex::escape(text)
}

/// Group `i` of a match, where the match has such a group.
pub open spec fn group(caps: Seq<Option<Seq<char>>>, i: int) -> Option<Seq<char>> {
    if 0 <= i < caps.len() {
        caps[i]
    } else {
        None
    }
}

/// Group `i` of a match (`regex::Captures::get`).
pub(crate) fn group_of(caps: &Vec<Option<String>>, i: usize) -> (g: Option<String>)
    ensures
        match g {
            Some(s) => group(caps_view(caps@), i as int) == Some(s@),
            None => group(caps_view(caps@), i as int) is None,
        },
{
    if i < caps.len() {
        match &caps[i] {
            Some(s) => Some(s.clone()),
            None => None,
        }
    } else {
        None
    }
}

} // verus!
