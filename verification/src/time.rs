use vstd::prelude::*;
use chrono::{Datelike, TimeZone, Timelike};
use crate::error::Error;

verus! {

#[verifier::external_type_specification]
#[verifier::external_body]
pub struct ExNaiveDateTime(chrono::NaiveDateTime);

/// A wall-clock date and time, by its fields.
#[derive(Debug, Clone, Copy, PartialEq, Eq, Structural)]
pub struct NaiveStamp {
    pub year: i32,
    pub month: u32,
    pub day: u32,
    pub hour: u32,
    pub minute: u32,
    pub second: u32,
    /// Nanoseconds since the second began; from 1_000_000_000 on, a leap
    /// second.
    pub nanosecond: u32,
}

/// What `chrono::NaiveDateTime::parse_from_str` makes of `src` read by the
/// format `fmt`: the fields of the date and time where it is accepted, else
/// `Err` with the message that the error displays.
pub uninterp spec fn naive_parse(src: Seq<char>, fmt: Seq<char>) -> Result<NaiveStamp, Seq<char>>;

/// The format of the dates in the history that TFS prints, such as
/// `Jan 15, 2024, 02:30:00 PM`.
pub open spec fn tfs_date_format() -> Seq<char> {
    "%b %d, %Y, %I:%M:%S %p"@
}

/// A parsed date and time together with its fields. Only `parse_naive`
/// builds one, so `stamp` always holds the fields of `value`.
pub struct ParsedDate {
    value: chrono::NaiveDateTime,
    stamp: NaiveStamp,
}

impl ParsedDate {
    /// The fields of the date and time.
    pub closed spec fn stamp(&self) -> NaiveStamp {
        self.stamp
    }
}

/// The outcome of a parse, by the fields of the parsed value.
pub open spec fn parse_outcome(res: Result<ParsedDate, String>) -> Result<NaiveStamp, Seq<char>> {
    match res {
        Ok(d) => Ok(d.stamp()),
        Err(msg) => Err(msg@),
    }
}

/// The digit `d`, for `d` below ten.
pub open spec fn digit(d: int) -> char {
    (48 + d) as char
}

/// `n`, below a hundred, in two digits.
pub open spec fn two_digits(n: int) -> Seq<char> {
    seq![digit(n / 10), digit(n % 10)]
}

/// The wall-clock date and time of `p` as RFC 3339 writes it,
/// `YYYY-MM-DDTHH:MM:SS`, for a year from 0 to 9999; a leap second is
/// written as second 60.
pub open spec fn wall_clock(p: NaiveStamp) -> Seq<char> {
    let second = if p.nanosecond >= 1_000_000_000 {
        p.second + 1
    } else {
        p.second as int
    };
    two_digits(p.year / 100) + two_digits((p.year % 100) as int) + "-"@ + two_digits(p.month as int) + "-"@
        + two_digits(p.day as int) + "T"@ + two_digits(p.hour as int) + ":"@ + two_digits(
        p.minute as int,
    ) + ":"@ + two_digits(second)
}

/// Calls `chrono::NaiveDateTime::parse_from_str`, keeping the parsed value
/// with its fields (`year`, `month`, `day`, `hour`, `minute`, `second`,
/// `nanosecond`) and turning the error into its message. Claims that the
/// outcome is `naive_parse(src, fmt)`.
#[verifier::external_body]
fn parse_naive(src: &str, fmt: &str) -> (res: Result<ParsedDate, String>)
    ensures
        parse_outcome(res) == naive_parse(src@, fmt@),
{
    match chrono::NaiveDateTime::parse_from_str(src, fmt) {
        Ok(t) => Ok(ParsedDate {
            value: t,
            stamp: NaiveStamp {
                year: t.year(),
                month: t.month(),
                day: t.day(),
                hour: t.hour(),
                minute: t.minute(),
                second: t.second(),
                nanosecond: t.nanosecond(),
            },
        }),
        Err(e) => Err(e.to_string()),
    }
}

/// Reads the parsed value as a wall-clock time of the machine's time zone
/// (`chrono::Local::from_local_datetime`); where that names exactly one
/// instant (`single`), returns it in RFC 3339 form (`to_rfc3339`). Whether
/// it does, and the offset that ends the text, depend on the time zone, so
/// they are not claimed. What is claimed is what chrono's source fixes
/// whatever the zone: the instant keeps the wall-clock time it was read
/// from, and `to_rfc3339` starts with that date and time, zero-padded, for a
/// year from 0 to 9999.
#[verifier::external_body]
fn local_rfc3339(d: &ParsedDate) -> (res: Option<String>)
    ensures
        res matches Some(s) ==> (0 <= d.stamp().year <= 9999 ==> s@.len() >= 19 && s@.take(19)
            == wall_clock(d.stamp())),
{
    chrono::Local.from_local_datetime(&d.value).single().map(|dt| dt.to_rfc3339())
}

/// What becomes of the local reading of a date: the RFC 3339 text where the
/// wall-clock time names one instant, else the error that says so.
pub fn local_date(local: Option<String>) -> (res: Result<String, Error>)
    ensures
        match local {
            Some(s) => res == Ok::<String, Error>(s),
            None => res matches Err(e) && e@ == "Invalid local datetime"@,
        },
{
    match local {
        Some(s) => Ok(s),
        None => Err(Error::new("Invalid local datetime")),
    }
}

/// Converts a date of the TFS history into the RFC 3339 form that
/// `git commit --date` takes, in the machine's time zone: the wall-clock
/// date and time read from `src`, followed by the zone's offset.
pub fn to_date(src: &str) -> (res: Result<String, Error>)
    ensures
        naive_parse(src@, tfs_date_format()) matches Err(m) ==> res matches Err(e) && e@ == m,
        naive_parse(src@, tfs_date_format()) is Ok ==> (res is Ok || (res matches Err(e) && e@
            == "Invalid local datetime"@)),
        naive_parse(src@, tfs_date_format()) matches Ok(p) ==> (res matches Ok(s) ==> (0 <= p.year
            <= 9999 ==> s@.len() >= 19 && s@.take(19) == wall_clock(p))),
{
    let parsed = match parse_naive(src, "%b %d, %Y, %I:%M:%S %p") {
        Ok(d) => d,
        Err(m) => return Err(Error(m)),
    };
    local_date(local_rfc3339(&parsed))
}

} // verus!
