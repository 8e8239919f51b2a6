use git_tfs::text::{join, lines, trim};

fn strings(v: &[&str]) -> Vec<String> {
    v.iter().map(|s| s.to_string()).collect()
}

#[test]
fn lines_split_at_line_feeds_and_crlf() {
    assert_eq!(lines("a\nb\r\nc"), strings(&["a", "b", "c"]));
}

#[test]
fn lines_final_line_ending_is_optional() {
    assert_eq!(lines("a\nb\n"), lines("a\nb"));
    assert_eq!(lines("a\n\n"), strings(&["a", ""]));
    assert_eq!(lines("\n"), strings(&[""]));
}

#[test]
fn lines_of_empty_text() {
    assert_eq!(lines(""), Vec::<String>::new());
}

#[test]
fn lines_keep_a_lone_carriage_return() {
    assert_eq!(lines("x\r"), strings(&["x\r"]));
    assert_eq!(lines("a\rb\n"), strings(&["a\rb"]));
}

#[test]
fn lines_hold_no_line_feed() {
    for l in lines("one\ntwo\r\n\nthree\r\n") {
        assert!(!l.contains('\n'));
    }
}

#[test]
fn trim_removes_surrounding_white_space() {
    assert_eq!(trim("  a b \t\n"), "a b");
    assert_eq!(trim("\u{3000}x\u{a0}"), "x");
    assert_eq!(trim(" \t "), "");
    assert_eq!(trim("inner  space"), "inner  space");
}

#[test]
fn trim_agrees_with_std() {
    for s in ["", " x ", "\u{85}y\u{2028}", "\r\nz", "a\u{200b}"] {
        assert_eq!(trim(s), s.trim());
    }
}

#[test]
fn trim_twice_is_trim_once() {
    let s = "  \u{2003}value\u{205f} ";
    assert_eq!(trim(&trim(s)), trim(s));
}

#[test]
fn join_puts_the_separator_between() {
    assert_eq!(join(&strings(&["a", "b", "c"]), "\n"), "a\nb\nc");
    assert_eq!(join(&strings(&["only"]), ","), "only");
    assert_eq!(join(&Vec::new(), ","), "");
}
