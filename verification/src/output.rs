use vstd::prelude::*;
use vstd::utf8::{valid_utf8, decode_utf8};
use crate::error::{Error, outcome};
use crate::text::{trim, trimmed};

verus! {

/// The message that `std::string::FromUtf8Error` displays for `bytes`.
pub uninterp spec fn utf8_error_text(bytes: Seq<u8>) -> Seq<char>;

/// Calls `String::from_utf8`, turning the error into its message. Claims
/// what its documentation says: it succeeds exactly on valid UTF-8, with the
/// text that the bytes encode; the message of the error is
/// `utf8_error_text(bytes)`.
#[verifier::external_body]
fn string_from_utf8(bytes: Vec<u8>) -> (res: Result<String, String>)
    ensures
        match res {
            Ok(s) => valid_utf8(bytes@) && s@ == decode_utf8(bytes@),
            Err(m) => !valid_utf8(bytes@) && m@ == utf8_error_text(bytes@),
        },
{
    String::from_utf8(bytes).map_err(|e| e.to_string())
}

/// What a finished `git` or `tf` process gives back: on success its output,
/// trimmed; on failure its error output as it is. Either must be UTF-8.
pub open spec fn output_spec(success: bool, stdout: Seq<u8>, stderr: Seq<u8>) -> Result<
    Seq<char>,
    Seq<char>,
> {
    if success {
        if valid_utf8(stdout) {
            Ok(trimmed(decode_utf8(stdout)))
        } else {
            Err("Invalid UTF-8: "@ + utf8_error_text(stdout))
        }
    } else {
        if valid_utf8(stderr) {
            Ok(decode_utf8(stderr))
        } else {
            Err("Invalid UTF-8 in stderr: "@ + utf8_error_text(stderr))
        }
    }
}

/// The text that a finished `git` or `tf` process gives back, from its exit
/// status and the bytes it wrote.
pub fn command_output(success: bool, stdout: Vec<u8>, stderr: Vec<u8>) -> (res: Result<
    String,
    Error,
>)
    ensures
        outcome(res) == output_spec(success, stdout@, stderr@),
{
    if success {
        match string_from_utf8(stdout) {
            Ok(s) => Ok(trim(s.as_str())),
            Err(m) => Err(Error(String::from_str("Invalid UTF-8: ").concat(m.as_str()))),
        }
    } else {
        match string_from_utf8(stderr) {
            Ok(s) => Ok(s),
            Err(m) => Err(Error(String::from_str("Invalid UTF-8 in stderr: ").concat(m.as_str()))),
        }
    }
}

/// The error for a `git` or `tf` process that could not be started.
pub fn launch_failure(program: &str, reason: &str) -> (e: Error)
    ensures
        e@ == "Failed to execute "@ + program@ + ": "@ + reason@,
{
    Error(String::from_str("Failed to execute ").concat(program).concat(": ").concat(reason))
}

} // verus!
