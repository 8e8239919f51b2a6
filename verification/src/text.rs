use vstd::prelude::*;

verus! {

/// Calls `String::push`, which appends `c` to `s`; the contract claims
/// exactly that.
#[verifier::external_body]
pub(crate) fn push_char(s: &mut String, c: char)
    ensures
        final(s)@ == old(s)@.push(c),
{
    s.push(c);
}

/// The characters of `s`, in order.
pub fn chars_of(s: &str) -> (v: Vec<char>)
    ensures
        v@ == s@,
{
    let mut v: Vec<char> = Vec::new();
    for c in it: s.chars()
        invariant
            v@ == it.seq().take(it.index() as int),
            it.seq() == s@,
    {
        v.push(c);
    }
    v
}

/// The string made of `v[from..to]`.
pub fn string_of_range(v: &Vec<char>, from: usize, to: usize) -> (s: String)
    requires
        from <= to <= v@.len(),
    ensures
        s@ == v@.subrange(from as int, to as int),
{
    let mut s = String::new();
    let mut i = from;
    while i < to
        invariant
            from <= i <= to <= v@.len(),
            s@ == v@.subrange(from as int, i as int),
        decreases to - i,
    {
        push_char(&mut s, v[i]);
        i = i + 1;
        assert(s@ =~= v@.subrange(from as int, i as int));
    }
    s
}

/// The characters with the Unicode `White_Space` property, which is what
/// `char::is_whitespace` and `str::trim` go by.
pub open spec fn is_white_space(c: char) -> bool {
    ||| ('\u{9}' <= c && c <= '\u{d}')
    ||| c == ' '
    ||| c == '\u{85}'
    ||| c == '\u{a0}'
    ||| c == '\u{1680}'
    ||| ('\u{2000}' <= c && c <= '\u{200a}')
    ||| c == '\u{2028}'
    ||| c == '\u{2029}'
    ||| c == '\u{202f}'
    ||| c == '\u{205f}'
    ||| c == '\u{3000}'
}

/// Decides `is_white_space`.
pub fn white_space(c: char) -> (b: bool)
    ensures
        b == is_white_space(c),
{
    ('\u{9}' <= c && c <= '\u{d}') || c == ' ' || c == '\u{85}' || c == '\u{a0}' || c == '\u{1680}'
        || ('\u{2000}' <= c && c <= '\u{200a}') || c == '\u{2028}' || c == '\u{2029}'
        || c == '\u{202f}' || c == '\u{205f}' || c == '\u{3000}'
}

/// `s` without its leading white space.
pub open spec fn trim_start(s: Seq<char>) -> Seq<char>
    decreases s.len(),
{
    if s.len() > 0 && is_white_space(s[0]) {
        trim_start(s.drop_first())
    } else {
        s
    }
}

/// `s` without its trailing white space.
pub open spec fn trim_end(s: Seq<char>) -> Seq<char>
    decreases s.len(),
{
    if s.len() > 0 && is_white_space(s.last()) {
        trim_end(s.drop_last())
    } else {
        s
    }
}

/// `s` without leading and trailing white space, as `str::trim` gives it.
pub open spec fn trimmed(s: Seq<char>) -> Seq<char> {
    trim_end(trim_start(s))
}

/// `s` with leading and trailing white space removed (`str::trim`).
pub fn trim(s: &str) -> (t: String)
    ensures
        t@ == trimmed(s@),
{
    let v = chars_of(s);
    let n = v.len();
    let mut i: usize = 0;
    assert(v@.subrange(0, n as int) =~= v@);
    while i < n && white_space(v[i])
        invariant
            i <= n == v@.len(),
            trim_start(v@) == trim_start(v@.subrange(i as int, n as int)),
        decreases n - i,
    {
        assert(v@.subrange(i as int, n as int).drop_first() =~= v@.subrange(i + 1, n as int));
        i = i + 1;
    }
    let mut j: usize = n;
    while j > i && white_space(v[j - 1])
        invariant
            i <= j <= n == v@.len(),
            trim_end(v@.subrange(i as int, n as int)) == trim_end(v@.subrange(i as int, j as int)),
        decreases j,
    {
        assert(v@.subrange(i as int, j as int).drop_last() =~= v@.subrange(i as int, j - 1));
        j = j - 1;
    }
    assert(v@ =~= s@);
    string_of_range(&v, i, j)
}

/// The state of a left-to-right split of `s` into lines: the lines that are
/// complete, and the line that is being read.
pub open spec fn line_scan(s: Seq<char>) -> (Seq<Seq<char>>, Seq<char>)
    decreases s.len(),
{
    if s.len() == 0 {
        (seq![], seq![])
    } else {
        let (done, cur) = line_scan(s.drop_last());
        if s.last() == '\n' {
            (done.push(strip_cr(cur)), seq![])
        } else {
            (done, cur.push(s.last()))
        }
    }
}

/// A line without the carriage return that ended it, if it had one.
pub open spec fn strip_cr(l: Seq<char>) -> Seq<char> {
    if l.len() > 0 && l.last() == '\r' {
        l.drop_last()
    } else {
        l
    }
}

/// The lines of `s` as `str::lines` yields them: split at `\n` and at
/// `\r\n`, without the terminators; the final line ending is optional.
pub open spec fn lines_of(s: Seq<char>) -> Seq<Seq<char>> {
    let (done, cur) = line_scan(s);
    if cur.len() == 0 {
        done
    } else {
        done.push(cur)
    }
}

/// The views of a sequence of strings.
pub open spec fn views(v: Seq<String>) -> Seq<Seq<char>> {
    v.map_values(|x: String| x@)
}

/// The lines of `s` (`str::lines`).
pub fn lines(s: &str) -> (ls: Vec<String>)
    ensures
        views(ls@) == lines_of(s@),
{
    let v = chars_of(s);
    let n = v.len();
    let mut done: Vec<String> = Vec::new();
    let mut start: usize = 0;
    let mut i: usize = 0;
    while i < n
        invariant
            start <= i <= n == v@.len(),
            v@ == s@,
            line_scan(v@.take(i as int)) == (views(done@), v@.subrange(start as int, i as int)),
        decreases n - i,
    {
        assert(v@.take(i + 1).drop_last() =~= v@.take(i as int));
        if v[i] == '\n' {
            let mut end = i;
            if end > start && v[end - 1] == '\r' {
                end = end - 1;
            }
            let line = string_of_range(&v, start, end);
            proof {
                let cur = v@.subrange(start as int, i as int);
                if i > start && v@[i - 1] == '\r' {
                    assert(cur.drop_last() =~= v@.subrange(start as int, end as int));
                } else {
                    assert(cur =~= v@.subrange(start as int, end as int));
                }
            }
            done.push(line);
            assert(views(done@) =~= line_scan(v@.take(i + 1)).0);
            start = i + 1;
        } else {
            assert(v@.subrange(start as int, i as int).push(v@[i as int]) =~= v@.subrange(
                start as int,
                i + 1,
            ));
        }
        i = i + 1;
    }
    assert(v@.take(n as int) =~= v@);
    if start < n {
        let last = string_of_range(&v, start, n);
        done.push(last);
        assert(views(done@) =~= lines_of(s@));
    }
    done
}

/// The lines `ls` joined with `sep` between each two of them.
pub open spec fn joined(ls: Seq<Seq<char>>, sep: Seq<char>) -> Seq<char>
    decreases ls.len(),
{
    if ls.len() == 0 {
        seq![]
    } else if ls.len() == 1 {
        ls[0]
    } else {
        joined(ls.drop_last(), sep) + sep + ls.last()
    }
}

/// The strings of `v` joined with `sep` between each two of them
/// (`slice::join`).
pub fn join(v: &Vec<String>, sep: &str) -> (s: String)
    ensures
        s@ == joined(views(v@), sep@),
{
    let mut s = String::new();
    let n = v.len();
    let mut i: usize = 0;
    while i < n
        invariant
            n == v@.len(),
            i <= n,
            s@ == joined(views(v@).take(i as int), sep@),
        decreases n - i,
    {
        assert(views(v@).take(i + 1).drop_last() =~= views(v@).take(i as int));
        if i > 0 {
            s.append(sep);
        } else {
            assert(views(v@).take(1) =~= seq![v@[0]@]);
        }
        s.append(v[i].as_str());
        i = i + 1;
    }
    assert(views(v@).take(n as int) =~= views(v@));
    s
}

/// Whether `s` neither starts nor ends with white space.
pub open spec fn is_trimmed(s: Seq<char>) -> bool {
    s.len() > 0 ==> !is_white_space(s[0]) && !is_white_space(s.last())
}

/// What `trim_start` leaves is a suffix of `s` that does not start with
/// white space.
proof fn lemma_trim_start(s: Seq<char>)
    ensures
        trim_start(s).len() <= s.len(),
        trim_start(s) == s.subrange(s.len() - trim_start(s).len(), s.len() as int),
        trim_start(s).len() > 0 ==> !is_white_space(trim_start(s)[0]),
    decreases s.len(),
{
    if s.len() > 0 && is_white_space(s[0]) {
        lemma_trim_start(s.drop_first());
        assert(s.drop_first().subrange(
            s.drop_first().len() - trim_start(s).len(),
            s.drop_first().len() as int,
        ) =~= s.subrange(s.len() - trim_start(s).len(), s.len() as int));
    } else {
        assert(s.subrange(0, s.len() as int) =~= s);
    }
}

/// What `trim_end` leaves is a prefix of `s` that does not end with white
/// space.
proof fn lemma_trim_end(s: Seq<char>)
    ensures
        trim_end(s).len() <= s.len(),
        trim_end(s) == s.take(trim_end(s).len() as int),
        trim_end(s).len() > 0 ==> !is_white_space(trim_end(s).last()),
    decreases s.len(),
{
    if s.len() > 0 && is_white_space(s.last()) {
        lemma_trim_end(s.drop_last());
        assert(s.drop_last().take(trim_end(s).len() as int) =~= s.take(trim_end(s).len() as int));
    } else {
        assert(s.take(s.len() as int) =~= s);
    }
}

/// A trimmed text neither starts nor ends with white space, and trimming it
/// again changes nothing.
pub broadcast proof fn lemma_trimmed(s: Seq<char>)
    ensures
        #[trigger] is_trimmed(trimmed(s)),
        trimmed(trimmed(s)) == trimmed(s),
{
    let t = trim_start(s);
    let r = trim_end(t);
    lemma_trim_start(s);
    lemma_trim_end(t);
    if r.len() > 0 {
        assert(r[0] == t[0]);
    }
    assert(trim_start(r) == r);
    assert(trim_end(r) == r);
}

/// No line of a text holds a line feed.
pub proof fn lemma_lines_have_no_line_feed(s: Seq<char>)
    ensures
        forall|i: int, j: int|
            0 <= i < lines_of(s).len() && 0 <= j < lines_of(s)[i].len() ==> lines_of(s)[i][j]
                != '\n',
{
    lemma_line_scan_has_no_line_feed(s);
}

proof fn lemma_line_scan_has_no_line_feed(s: Seq<char>)
    ensures
        forall|i: int, j: int|
            0 <= i < line_scan(s).0.len() && 0 <= j < line_scan(s).0[i].len() ==> line_scan(s).0[i][j]
                != '\n',
        forall|j: int| 0 <= j < line_scan(s).1.len() ==> line_scan(s).1[j] != '\n',
    decreases s.len(),
{
    if s.len() > 0 {
        lemma_line_scan_has_no_line_feed(s.drop_last());
        let (done, cur) = line_scan(s.drop_last());
        if s.last() == '\n' {
            let l = strip_cr(cur);
            assert forall|j: int| 0 <= j < l.len() implies l[j] != '\n' by {
                assert(l[j] == cur[j]);
            }
            assert(line_scan(s).0 == done.push(l));
            assert forall|i: int, j: int|
                0 <= i < line_scan(s).0.len() && 0 <= j < line_scan(s).0[i].len() implies line_scan(
                s,
            ).0[i][j] != '\n' by {
                if i < done.len() {
                    assert(line_scan(s).0[i] == done[i]);
                } else {
                    assert(line_scan(s).0[i] == l);
                }
            }
        } else {
            assert(line_scan(s).1 == cur.push(s.last()));
            assert forall|j: int| 0 <= j < line_scan(s).1.len() implies line_scan(s).1[j] != '\n' by {
                if j < cur.len() {
                    assert(line_scan(s).1[j] == cur[j]);
                }
            }
        }
    }
}

proof fn lemma_scan_tail(x: Seq<char>, b: Seq<char>)
    requires
        x.len() > 0,
        x.last() == '\n',
        forall|j: int| 0 <= j < b.len() ==> b[j] != '\n',
    ensures
        line_scan(x + b).1 == b,
    decreases b.len(),
{
    if b.len() == 0 {
        assert(x + b =~= x);
    } else {
        lemma_scan_tail(x, b.drop_last());
        assert((x + b).drop_last() =~= x + b.drop_last());
        assert(b.drop_last().push(b.last()) =~= b);
    }
}

/// The text after the last line feed, where there is any, is the last line.
pub proof fn lemma_last_line(a: Seq<char>, b: Seq<char>)
    requires
        b.len() > 0,
        forall|j: int| 0 <= j < b.len() ==> b[j] != '\n',
    ensures
        lines_of(a.push('\n') + b).len() > 0,
        lines_of(a.push('\n') + b).last() == b,
{
    lemma_scan_tail(a.push('\n'), b);
}

} // verus!
