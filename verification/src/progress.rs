use vstd::prelude::*;

verus! {

/// The frame that the progress indicator shows at tick `tick`: it turns
/// through `-`, `\`, `|` and `/`.
pub open spec fn frame_at(tick: nat) -> char {
    let k = tick % 4;
    if k == 0 {
        '-'
    } else if k == 1 {
        '\\'
    } else if k == 2 {
        '|'
    } else {
        '/'
    }
}

/// The frame of the progress indicator at tick `tick`.
pub fn spinner_frame(tick: usize) -> (c: char)
    ensures
        c == frame_at(tick as nat),
{
    let k = tick % 4;
    if k == 0 {
        '-'
    } else if k == 1 {
        '\\'
    } else if k == 2 {
        '|'
    } else {
        '/'
    }
}

/// The mark that closes a progress line: `!` where the work failed, a check
/// mark where it was done.
pub fn closing_mark(failed: bool) -> (c: char)
    ensures
        c == (if failed {
            '!'
        } else {
            '\u{2713}'
        }),
{
    if failed {
        '!'
    } else {
        '\u{2713}'
    }
}

} // verus!
