use git_tfs::output::{command_output, launch_failure};
use git_tfs::progress::{closing_mark, spinner_frame};
use git_tfs::time::{local_date, to_date};
use git_tfs::Error;

#[test]
fn error_new_keeps_the_message() {
    let e = Error::new("No command!");
    assert_eq!(e.0, "No command!");
    assert_eq!(e.to_string(), "No command!");
}

#[test]
fn error_from_string() {
    let e: Error = String::from("boom").into();
    assert_eq!(e, Error::new("boom"));
}

#[test]
fn successful_output_is_trimmed() {
    assert_eq!(command_output(true, b"  main \n".to_vec(), b"warn".to_vec()), Ok("main".to_string()));
}

#[test]
fn failed_output_is_the_error_output() {
    assert_eq!(
        command_output(false, b"ignored".to_vec(), b"fatal: bad\n".to_vec()),
        Ok("fatal: bad\n".to_string())
    );
}

#[test]
fn output_that_is_not_utf8() {
    let r = command_output(true, vec![0xff, 0x41], vec![]);
    assert!(r.unwrap_err().0.starts_with("Invalid UTF-8: "));
    let r = command_output(false, vec![], vec![0xc3]);
    assert!(r.unwrap_err().0.starts_with("Invalid UTF-8 in stderr: "));
}

#[test]
fn failure_to_start_a_program() {
    assert_eq!(launch_failure("git", "not found"), Error::new("Failed to execute git: not found"));
}

#[test]
fn date_in_rfc3339() {
    let d = to_date("Jan 15, 2024, 02:30:00 PM").unwrap();
    assert!(d.starts_with("2024-01-15T14:30:00"), "{}", d);
}

#[test]
fn date_that_does_not_parse() {
    assert!(to_date("yesterday").is_err());
}

#[test]
fn local_date_outcomes() {
    assert_eq!(local_date(Some("x".to_string())), Ok("x".to_string()));
    assert_eq!(local_date(None), Err(Error::new("Invalid local datetime")));
}

#[test]
fn spinner_turns_through_four_frames() {
    let frames: Vec<char> = (0..6).map(spinner_frame).collect();
    assert_eq!(frames, vec!['-', '\\', '|', '/', '-', '\\']);
    assert_eq!(closing_mark(true), '!');
    assert_eq!(closing_mark(false), '\u{2713}');
}

#[test]
fn date_keeps_the_wall_clock_time_it_was_given() {
    let d = to_date("Dec 31, 1999, 11:59:59 PM").unwrap();
    assert!(d.starts_with("1999-12-31T23:59:59"), "{}", d);
    let d = to_date("Mar 05, 2021, 12:07:09 AM").unwrap();
    assert!(d.starts_with("2021-03-05T00:07:09"), "{}", d);
}
